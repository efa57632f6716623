//! Rules on how one commit may move the records it read.
use vstd::prelude::*;

use crate::bytes::bytes_eq;
use crate::estimate;
use crate::estimate::estimate_transaction_bytes;
use crate::ids::{DirectoryCookie, DirectoryGeneration, FilesystemId, InodeId};
use crate::key::RecordKey;
use crate::limits::{StateLimitError, StateLimitKind, StateLimits};
use crate::record;
use crate::record::{DirectoryEntryRecord, InodeRecord, StateRecord, XattrStagingRecord};
use crate::request::{CommitRequest, MalformedCommit, StateChange};
use crate::table;
use crate::table::{RecordTable, Records};

verus! {

/// A change as contracts speak of it.
pub type Change = StateChange<Seq<u8>, Seq<char>>;

/// A malformed request as contracts speak of it.
pub type Malformed = MalformedCommit<Seq<u8>>;

/// The filesystem header, if it is known to be there.
pub open spec fn header(records: Records, filesystem_id: FilesystemId) -> Option<
    record::FilesystemRecord,
> {
    match table::present(records, RecordKey::Filesystem(filesystem_id)) {
        Some(StateRecord::Filesystem(filesystem)) => Some(filesystem),
        _ => None,
    }
}

/// The directory entry that a deletion removes.
pub open spec fn removed_entry(records: Records, change: Change) -> Option<
    DirectoryEntryRecord<Seq<u8>>,
> {
    match change {
        StateChange::Delete(key) => match table::present(records, key) {
            Some(StateRecord::DirectoryEntry(entry)) => Some(entry),
            _ => None,
        },
        _ => None,
    }
}

/// The directory entry that an insertion adds.
pub open spec fn inserted_entry(change: Change) -> Option<DirectoryEntryRecord<Seq<u8>>> {
    match change {
        StateChange::Insert { record: StateRecord::DirectoryEntry(entry), .. } => Some(entry),
        _ => None,
    }
}

/// An allocation in progress.
pub struct Allocation {
    /// Number that the next allocation must take.
    pub next: u64,
    /// Numbers taken so far.
    pub taken: nat,
    /// Numbers declared so far.
    pub declared: nat,
}

/// Takes the next number.
pub open spec fn take_number(
    state: Allocation,
    number: u64,
    disorder: Malformed,
) -> Result<Allocation, Malformed> {
    if number != state.next {
        Err(disorder)
    } else if state.next == u64::MAX {
        Err(MalformedCommit::Arithmetic)
    } else {
        Ok(
            Allocation {
                next: (state.next + 1) as u64,
                taken: state.taken + 1,
                declared: state.declared,
            },
        )
    }
}

/// Declares numbers.
pub open spec fn declare_numbers(state: Allocation, count: u64) -> Result<Allocation, Malformed> {
    if state.declared + count > u64::MAX {
        Err(MalformedCommit::Arithmetic)
    } else {
        Ok(
            Allocation {
                next: state.next,
                taken: state.taken,
                declared: state.declared + count as nat,
            },
        )
    }
}

/// One change's part in the allocation of path numbers.
pub open spec fn qid_step(records: Records, change: Change, state: Allocation) -> Result<
    Allocation,
    Malformed,
> {
    match change {
        StateChange::Insert { record: StateRecord::Inode(inode), .. } => take_number(
            state,
            inode.qid_path.value,
            MalformedCommit::QidPathAllocation,
        ),
        StateChange::Replace { key, record: StateRecord::Inode(replacement) } => {
            match table::present(records, key) {
                Some(StateRecord::Inode(current)) => if current.qid_path != replacement.qid_path {
                    Err(MalformedCommit::QidPathAllocation)
                } else {
                    Ok(state)
                },
                _ => Ok(state),
            }
        },
        StateChange::AdvanceQidPath { count } => declare_numbers(state, count),
        _ => Ok(state),
    }
}

/// The allocation of path numbers after all changes.
pub open spec fn qid_scan(records: Records, changes: Seq<Change>, first: u64) -> Result<
    Allocation,
    Malformed,
>
    decreases changes.len(),
{
    if changes.len() == 0 {
        Ok(Allocation { next: first, taken: 0, declared: 0 })
    } else {
        match qid_scan(records, changes.drop_last(), first) {
            Ok(state) => qid_step(records, changes.last(), state),
            Err(error) => Err(error),
        }
    }
}

/// An inserted entry continues a deleted one: same cookie, same child.
pub open spec fn transfers(
    records: Records,
    changes: Seq<Change>,
    entry: DirectoryEntryRecord<Seq<u8>>,
) -> bool {
    exists|i: int|
        0 <= i < changes.len() && continued_by(removed_entry(records, #[trigger] changes[i]), entry)
}

/// An entry keeps the cookie and child of a removed one.
pub open spec fn continued_by(
    removed: Option<DirectoryEntryRecord<Seq<u8>>>,
    entry: DirectoryEntryRecord<Seq<u8>>,
) -> bool {
    match removed {
        Some(old) => old.cookie == entry.cookie && old.child_inode_id == entry.child_inode_id,
        None => false,
    }
}

/// One change's part in the allocation of directory cookies.
pub open spec fn cookie_step(
    records: Records,
    changes: Seq<Change>,
    change: Change,
    state: Allocation,
) -> Result<Allocation, Malformed> {
    match change {
        StateChange::Insert { record: StateRecord::DirectoryEntry(entry), .. } => {
            if transfers(records, changes, entry) {
                Ok(state)
            } else {
                take_number(state, entry.cookie.value, MalformedCommit::DirectoryCookieAllocation)
            }
        },
        StateChange::Replace { key, record: StateRecord::DirectoryEntry(replacement) } => {
            match table::present(records, key) {
                Some(StateRecord::DirectoryEntry(current)) => if current.cookie
                    != replacement.cookie {
                    Err(MalformedCommit::DirectoryCookieAllocation)
                } else {
                    Ok(state)
                },
                _ => Ok(state),
            }
        },
        StateChange::AdvanceDirectoryCookie { count } => declare_numbers(state, count),
        _ => Ok(state),
    }
}

/// The allocation of directory cookies after the first `count` changes.
pub open spec fn cookie_scan(records: Records, changes: Seq<Change>, first: u64, count: int) -> Result<
    Allocation,
    Malformed,
>
    decreases count,
{
    if count <= 0 {
        Ok(Allocation { next: first, taken: 0, declared: 0 })
    } else {
        match cookie_scan(records, changes, first, count - 1) {
            Ok(state) => cookie_step(records, changes, changes[count - 1], state),
            Err(error) => Err(error),
        }
    }
}

/// The failure of an allocation that must take exactly what it declares.
pub open spec fn allocation_failure(
    outcome: Result<Allocation, Malformed>,
    disorder: Malformed,
) -> Option<Malformed> {
    match outcome {
        Err(error) => Some(error),
        Ok(state) => if state.taken != state.declared {
            Some(disorder)
        } else {
            None
        },
    }
}

/// Why changes allocate path numbers wrongly.
pub open spec fn qid_failure(
    filesystem_id: FilesystemId,
    records: Records,
    changes: Seq<Change>,
) -> Option<Malformed> {
    match header(records, filesystem_id) {
        None => None,
        Some(filesystem) => allocation_failure(
            qid_scan(records, changes, filesystem.next_qid_path.value),
            MalformedCommit::QidPathAllocation,
        ),
    }
}

/// Why changes allocate directory cookies wrongly.
pub open spec fn cookie_failure(
    filesystem_id: FilesystemId,
    records: Records,
    changes: Seq<Change>,
) -> Option<Malformed> {
    match header(records, filesystem_id) {
        None => None,
        Some(filesystem) => allocation_failure(
            cookie_scan(
                records,
                changes,
                filesystem.next_directory_cookie.value,
                changes.len() as int,
            ),
            MalformedCommit::DirectoryCookieAllocation,
        ),
    }
}

/// The directory in which a change adds, alters or removes an entry.
pub open spec fn changed_directory(records: Records, change: Change) -> Option<InodeId> {
    match change {
        StateChange::Insert { record: StateRecord::DirectoryEntry(entry), .. } => Some(
            entry.parent_inode_id,
        ),
        StateChange::Replace { record: StateRecord::DirectoryEntry(entry), .. } => Some(
            entry.parent_inode_id,
        ),
        _ => match removed_entry(records, change) {
            Some(entry) => Some(entry.parent_inode_id),
            None => None,
        },
    }
}

/// Some change adds, alters or removes an entry of a directory.
pub open spec fn is_changed_directory(
    records: Records,
    changes: Seq<Change>,
    parent: InodeId,
) -> bool {
    exists|i: int|
        0 <= i < changes.len() && changed_directory(records, #[trigger] changes[i]) == Some(parent)
}

/// A generation follows another one directly.
pub open spec fn follows(old: Option<DirectoryGeneration>, new: Option<DirectoryGeneration>) -> bool {
    match (old, new) {
        (Some(old), Some(new)) => old.next() == Some(new),
        _ => false,
    }
}

/// A change steps the generation of a directory.
pub open spec fn steps_generation(
    filesystem_id: FilesystemId,
    records: Records,
    change: Change,
    parent: InodeId,
) -> bool {
    match change {
        StateChange::BumpDirectoryGeneration(inode_id) => inode_id == parent,
        StateChange::Replace { key, record: StateRecord::Inode(replacement) } => {
            &&& key == RecordKey::<Seq<u8>>::Inode(filesystem_id, parent)
            &&& match table::present(records, key) {
                Some(StateRecord::Inode(current)) => follows(
                    record::directory_generation(current),
                    record::directory_generation(replacement),
                ),
                _ => false,
            }
        },
        _ => false,
    }
}

/// Some change steps the generation of a directory.
pub open spec fn is_stepped(
    filesystem_id: FilesystemId,
    records: Records,
    changes: Seq<Change>,
    parent: InodeId,
) -> bool {
    exists|i: int|
        0 <= i < changes.len() && steps_generation(
            filesystem_id,
            records,
            #[trigger] changes[i],
            parent,
        )
}

/// The first removed entry of a child in a parent.
pub open spec fn first_removed(
    records: Records,
    changes: Seq<Change>,
    child: InodeId,
    parent: InodeId,
) -> Option<DirectoryEntryRecord<Seq<u8>>>
    decreases changes.len(),
{
    if changes.len() == 0 {
        None
    } else {
        match first_removed(records, changes.drop_last(), child, parent) {
            Some(entry) => Some(entry),
            None => entry_of(removed_entry(records, changes.last()), child, parent),
        }
    }
}

/// The first inserted entry of a child in a parent.
pub open spec fn first_inserted(changes: Seq<Change>, child: InodeId, parent: InodeId) -> Option<
    DirectoryEntryRecord<Seq<u8>>,
>
    decreases changes.len(),
{
    if changes.len() == 0 {
        None
    } else {
        match first_inserted(changes.drop_last(), child, parent) {
            Some(entry) => Some(entry),
            None => entry_of(inserted_entry(changes.last()), child, parent),
        }
    }
}

/// An entry, if it links a child into a parent.
pub open spec fn entry_of(
    entry: Option<DirectoryEntryRecord<Seq<u8>>>,
    child: InodeId,
    parent: InodeId,
) -> Option<DirectoryEntryRecord<Seq<u8>>> {
    match entry {
        Some(entry) => if entry.child_inode_id == child && entry.parent_inode_id == parent {
            Some(entry)
        } else {
            None
        },
        None => None,
    }
}

/// A directory keeps its parent, or the changes move its one entry along
/// with its cookie.
pub open spec fn parent_step_valid(
    records: Records,
    changes: Seq<Change>,
    current: InodeRecord<Seq<u8>, Seq<char>>,
    replacement: InodeRecord<Seq<u8>, Seq<char>>,
) -> bool {
    match (record::directory_parent(current), record::directory_parent(replacement)) {
        (Some(old), Some(new)) => old == new || match (
            first_removed(records, changes, current.inode_id, old),
            first_inserted(changes, current.inode_id, new),
        ) {
            (Some(removed), Some(inserted)) => removed.cookie == inserted.cookie,
            _ => false,
        },
        (old, new) => old == new,
    }
}

/// A directory generation steps exactly when entries change.
pub open spec fn generation_step_valid(
    records: Records,
    changes: Seq<Change>,
    current: InodeRecord<Seq<u8>, Seq<char>>,
    replacement: InodeRecord<Seq<u8>, Seq<char>>,
) -> bool {
    let old = record::directory_generation(current);
    let new = record::directory_generation(replacement);
    if old is Some && new is Some && is_changed_directory(records, changes, current.inode_id) {
        follows(old, new)
    } else {
        old == new
    }
}

/// A replacement moves its record only forwards.
pub open spec fn replacement_valid(
    records: Records,
    changes: Seq<Change>,
    current: StateRecord<Seq<u8>, Seq<char>>,
    replacement: StateRecord<Seq<u8>, Seq<char>>,
) -> bool {
    match (current, replacement) {
        (StateRecord::Filesystem(old), StateRecord::Filesystem(new)) => old.root_inode_id
            == new.root_inode_id && old.next_qid_path == new.next_qid_path
            && old.next_directory_cookie == new.next_directory_cookie && old.policy_generation
            == new.policy_generation,
        (StateRecord::Inode(old), StateRecord::Inode(new)) => record::data_kind(old.data)
            == record::data_kind(new.data) && old.inode_generation.next() == Some(
            new.inode_generation,
        ) && record::inode_content(old) == record::inode_content(new) && record::content_file(old)
            == record::content_file(new) && generation_step_valid(records, changes, old, new)
            && parent_step_valid(records, changes, old, new),
        (StateRecord::DirectoryEntry(old), StateRecord::DirectoryEntry(new)) => old.cookie
            == new.cookie && old.parent_inode_id == new.parent_inode_id,
        (StateRecord::Lock(old), StateRecord::Lock(new)) => old.generation.next() == Some(
            new.generation,
        ),
        (StateRecord::Orphan(old), StateRecord::Orphan(new)) => old.orphaned_revision
            == new.orphaned_revision,
        _ => true,
    }
}

/// A change is a replacement that moves its record backwards.
pub open spec fn moves_backwards(records: Records, changes: Seq<Change>, change: Change) -> bool {
    match change {
        StateChange::Replace { key, record } => match table::present(records, key) {
            Some(current) => !replacement_valid(records, changes, current, record),
            None => false,
        },
        _ => false,
    }
}

/// Every changed directory steps its generation.
pub open spec fn generations_step(
    filesystem_id: FilesystemId,
    records: Records,
    changes: Seq<Change>,
) -> bool {
    forall|parent: InodeId|
        #![trigger is_changed_directory(records, changes, parent)]
        is_changed_directory(records, changes, parent) ==> is_stepped(
            filesystem_id,
            records,
            changes,
            parent,
        )
}

/// Why changes move records backwards.
pub open spec fn monotonic_failure(
    filesystem_id: FilesystemId,
    records: Records,
    changes: Seq<Change>,
) -> Option<Malformed> {
    if table::present(records, RecordKey::Filesystem(filesystem_id)) is None {
        None
    } else if !generations_step(filesystem_id, records, changes) {
        Some(MalformedCommit::NamespaceGeneration)
    } else if exists|i: int|
        0 <= i < changes.len() && moves_backwards(records, changes, #[trigger] changes[i]) {
        Some(MalformedCommit::NonMonotonicTransition)
    } else {
        None
    }
}

/// A change writes an attribute directly.
pub open spec fn writes_xattr(
    change: Change,
    staging: XattrStagingRecord<Seq<u8>>,
) -> bool {
    match change {
        StateChange::Insert { record: StateRecord::Xattr(xattr), .. } => xattr.inode_id
            == staging.inode_id && xattr.name == staging.name,
        StateChange::Replace { record: StateRecord::Xattr(xattr), .. } => xattr.inode_id
            == staging.inode_id && xattr.name == staging.name,
        _ => false,
    }
}

/// One change's part in the publication of staged attributes, given the
/// staged bytes published so far.
pub open spec fn staging_step(
    filesystem_id: FilesystemId,
    records: Records,
    changes: Seq<Change>,
    change: Change,
    staged: nat,
) -> Result<nat, Malformed> {
    match change {
        StateChange::PublishXattrStaging(publication) => match table::present(
            records,
            RecordKey::XattrStaging(filesystem_id, publication.staging_id),
        ) {
            Some(StateRecord::XattrStaging(staging)) => if staging.inode_id != publication.inode_id
                || staging.name != publication.name || !record::staging_complete(staging) {
                Err(MalformedCommit::InvalidXattrStaging)
            } else if staged + staging.bytes.bytes.len() > usize::MAX {
                Err(MalformedCommit::Arithmetic)
            } else {
                Ok(staged + staging.bytes.bytes.len())
            },
            _ => Err(MalformedCommit::InvalidXattrStaging),
        },
        StateChange::Delete(RecordKey::XattrStaging(filesystem, staging_id)) => match table::present(
            records,
            RecordKey::XattrStaging(filesystem, staging_id),
        ) {
            Some(StateRecord::XattrStaging(staging)) => if exists|i: int|
                0 <= i < changes.len() && writes_xattr(#[trigger] changes[i], staging) {
                Err(MalformedCommit::XattrPublicationRequired)
            } else {
                Ok(staged)
            },
            _ => Ok(staged),
        },
        _ => Ok(staged),
    }
}

/// The staged bytes that the first `count` changes publish.
pub open spec fn staging_scan(
    filesystem_id: FilesystemId,
    records: Records,
    changes: Seq<Change>,
    count: int,
) -> Result<nat, Malformed>
    decreases count,
{
    if count <= 0 {
        Ok(0)
    } else {
        match staging_scan(filesystem_id, records, changes, count - 1) {
            Ok(staged) => staging_step(
                filesystem_id,
                records,
                changes,
                changes[count - 1],
                staged,
            ),
            Err(error) => Err(error),
        }
    }
}

/// Why staged attributes are published wrongly, or too much is written.
pub open spec fn xattr_failure(
    request: CommitRequest,
    records: Records,
    limits: StateLimits,
) -> Option<Malformed> {
    let changes = request.change_seq();
    match staging_scan(request.filesystem_id, records, changes, changes.len() as int) {
        Err(error) => Some(error),
        Ok(staged) => {
            let estimated = estimate::request_bytes(request) + staged;
            if estimated > usize::MAX {
                Some(MalformedCommit::Arithmetic)
            } else if estimated > limits.values.max_transaction_bytes {
                Some(
                    MalformedCommit::Limit(
                        StateLimitError {
                            kind: StateLimitKind::TransactionBytes,
                            actual: estimated as u64,
                            maximum: limits.values.max_transaction_bytes as u64,
                        },
                    ),
                )
            } else {
                None
            }
        },
    }
}

/// Why a request may not move the records it read.
pub open spec fn transition_failure(
    request: CommitRequest,
    records: Records,
    limits: StateLimits,
) -> Option<Malformed> {
    let changes = request.change_seq();
    let cookies = cookie_failure(request.filesystem_id, records, changes);
    let paths = qid_failure(request.filesystem_id, records, changes);
    let monotonic = monotonic_failure(request.filesystem_id, records, changes);
    if cookies is Some {
        cookies
    } else if paths is Some {
        paths
    } else if monotonic is Some {
        monotonic
    } else {
        xattr_failure(request, records, limits)
    }
}

/// The result of a check meets its optional failure.
pub open spec fn reports(result: Result<(), MalformedCommit>, failure: Option<Malformed>) -> bool {
    match result {
        Ok(()) => failure is None,
        Err(error) => failure == Some(error@),
    }
}

fn removed<'a>(records: &'a RecordTable, change: &StateChange) -> (result: Option<
    &'a DirectoryEntryRecord,
>)
    ensures
        match result {
            Some(entry) => removed_entry(records@, change@) == Some(entry@),
            None => removed_entry(records@, change@) is None,
        },
{
    match change {
        StateChange::Delete(key) => match records.get(key) {
            Some(StateRecord::DirectoryEntry(entry)) => Some(entry),
            _ => None,
        },
        _ => None,
    }
}

fn is_transfer(
    records: &RecordTable,
    changes: &Vec<StateChange>,
    entry: &DirectoryEntryRecord,
) -> (result: bool)
    ensures
        result == transfers(records@, crate::request::change_views(changes@), entry@),
{
    let ghost views = crate::request::change_views(changes@);
    let mut index: usize = 0;
    while index < changes.len()
        invariant
            index <= changes@.len(),
            views == crate::request::change_views(changes@),
            forall|i: int|
                0 <= i < index ==> !continued_by(
                    removed_entry(records@, #[trigger] views[i]),
                    entry@,
                ),
        decreases changes@.len() - index,
    {
        assert(views[index as int] == changes@[index as int]@);
        match removed(records, &changes[index]) {
            Some(old) => {
                if old.cookie == entry.cookie && old.child_inode_id == entry.child_inode_id {
                    assert(continued_by(removed_entry(records@, views[index as int]), entry@));
                    return true;
                }
            },
            None => {},
        }
        index = index + 1;
    }
    false
}

/// Checks that inserted entries take cookies in order, and exactly as many as
/// the request declares.
pub fn validate_directory_transition(request: &CommitRequest, records: &RecordTable) -> (result:
    Result<(), MalformedCommit>)
    ensures
        reports(result, cookie_failure(request.filesystem_id, records@, request.change_seq())),
{
    let filesystem = match records.get(&RecordKey::Filesystem(request.filesystem_id)) {
        Some(StateRecord::Filesystem(filesystem)) => filesystem,
        _ => {
            return Ok(());
        },
    };
    let ghost views = request.change_seq();
    let ghost first = filesystem.next_directory_cookie.value;
    let mut next: DirectoryCookie = filesystem.next_directory_cookie;
    let mut taken: u64 = 0;
    let mut declared: u64 = 0;
    let mut index: usize = 0;
    while index < request.changes.len()
        invariant
            index <= views.len(),
            taken <= index,
            views == request.change_seq(),
            views.len() == request.changes@.len(),
            header(records@, request.filesystem_id) is Some,
            first == header(records@, request.filesystem_id)->0.next_directory_cookie.value,
            cookie_scan(records@, views, first, index as int) == Ok::<Allocation, Malformed>(
                Allocation { next: next.value, taken: taken as nat, declared: declared as nat },
            ),
        decreases views.len() - index,
    {
        let change = &request.changes[index];
        let ghost before = Allocation {
            next: next.value,
            taken: taken as nat,
            declared: declared as nat,
        };
        assert(views[index as int] == change@);
        proof {
            lemma_cookie_error(records@, views, first, index as int + 1, views.len() as int);
        }
        match change {
            StateChange::Insert { record: StateRecord::DirectoryEntry(entry), .. } => {
                if !is_transfer(records, &request.changes, entry) {
                    if entry.cookie != next {
                        return Err(MalformedCommit::DirectoryCookieAllocation);
                    }
                    next = match next.checked_next() {
                        Ok(next) => next,
                        Err(_) => {
                            return Err(MalformedCommit::Arithmetic);
                        },
                    };
                    taken = taken + 1;
                }
            },
            StateChange::Replace { key, record: StateRecord::DirectoryEntry(replacement) } => {
                match records.get(key) {
                    Some(StateRecord::DirectoryEntry(current)) => {
                        if current.cookie != replacement.cookie {
                            return Err(MalformedCommit::DirectoryCookieAllocation);
                        }
                    },
                    _ => {},
                }
            },
            StateChange::AdvanceDirectoryCookie { count } => {
                declared = match declared.checked_add(*count) {
                    Some(declared) => declared,
                    None => {
                        return Err(MalformedCommit::Arithmetic);
                    },
                };
            },
            _ => {},
        }
        index = index + 1;
    }
    if taken != declared {
        return Err(MalformedCommit::DirectoryCookieAllocation);
    }
    Ok(())
}

proof fn lemma_cookie_error(
    records: Records,
    changes: Seq<Change>,
    first: u64,
    count: int,
    total: int,
)
    requires
        0 <= count <= total,
    ensures
        cookie_scan(records, changes, first, count) is Err ==> cookie_scan(
            records,
            changes,
            first,
            total,
        ) == cookie_scan(records, changes, first, count),
    decreases total - count,
{
    if count < total {
        lemma_cookie_error(records, changes, first, count + 1, total);
    }
}

proof fn lemma_qid_error(records: Records, changes: Seq<Change>, first: u64, count: int)
    requires
        0 <= count <= changes.len(),
    ensures
        qid_scan(records, changes.take(count), first) is Err ==> qid_scan(records, changes, first)
            == qid_scan(records, changes.take(count), first),
    decreases changes.len() - count,
{
    if count < changes.len() {
        lemma_qid_error(records, changes, first, count + 1);
        assert(changes.take(count + 1).drop_last() =~= changes.take(count));
    } else {
        assert(changes.take(count) =~= changes);
    }
}

/// Checks that inserted inodes take path numbers in order, and exactly as many
/// as the request declares.
pub fn validate_qid_path_transition(request: &CommitRequest, records: &RecordTable) -> (result:
    Result<(), MalformedCommit>)
    ensures
        reports(result, qid_failure(request.filesystem_id, records@, request.change_seq())),
{
    let filesystem = match records.get(&RecordKey::Filesystem(request.filesystem_id)) {
        Some(StateRecord::Filesystem(filesystem)) => filesystem,
        _ => {
            return Ok(());
        },
    };
    let ghost views = request.change_seq();
    let ghost first = filesystem.next_qid_path.value;
    let mut next: u64 = filesystem.next_qid_path.value;
    let mut taken: u64 = 0;
    let mut declared: u64 = 0;
    let mut index: usize = 0;
    assert(views.take(0) =~= Seq::empty());
    while index < request.changes.len()
        invariant
            index <= views.len(),
            taken <= index,
            views == request.change_seq(),
            views.len() == request.changes@.len(),
            header(records@, request.filesystem_id) is Some,
            first == header(records@, request.filesystem_id)->0.next_qid_path.value,
            qid_scan(records@, views.take(index as int), first) == Ok::<Allocation, Malformed>(
                Allocation { next, taken: taken as nat, declared: declared as nat },
            ),
        decreases views.len() - index,
    {
        let change = &request.changes[index];
        proof {
            assert(views.take(index + 1).drop_last() =~= views.take(index as int));
            assert(views.take(index + 1).last() == change@);
            lemma_qid_error(records@, views, first, index + 1);
        }
        match change {
            StateChange::Insert { record: StateRecord::Inode(inode), .. } => {
                if inode.qid_path.value != next {
                    return Err(MalformedCommit::QidPathAllocation);
                }
                next = match next.checked_add(1) {
                    Some(next) => next,
                    None => {
                        return Err(MalformedCommit::Arithmetic);
                    },
                };
                taken = taken + 1;
            },
            StateChange::Replace { key, record: StateRecord::Inode(replacement) } => {
                match records.get(key) {
                    Some(StateRecord::Inode(current)) => {
                        if current.qid_path != replacement.qid_path {
                            return Err(MalformedCommit::QidPathAllocation);
                        }
                    },
                    _ => {},
                }
            },
            StateChange::AdvanceQidPath { count } => {
                declared = match declared.checked_add(*count) {
                    Some(declared) => declared,
                    None => {
                        return Err(MalformedCommit::Arithmetic);
                    },
                };
            },
            _ => {},
        }
        index = index + 1;
    }
    assert(views.take(index as int) =~= views);
    if taken != declared {
        return Err(MalformedCommit::QidPathAllocation);
    }
    Ok(())
}

fn parent_of_change(records: &RecordTable, change: &StateChange) -> (result: Option<InodeId>)
    ensures
        result == changed_directory(records@, change@),
{
    match change {
        StateChange::Insert { record: StateRecord::DirectoryEntry(entry), .. } => Some(
            entry.parent_inode_id,
        ),
        StateChange::Replace { record: StateRecord::DirectoryEntry(entry), .. } => Some(
            entry.parent_inode_id,
        ),
        _ => match removed(records, change) {
            Some(entry) => Some(entry.parent_inode_id),
            None => None,
        },
    }
}

fn changes_directory(
    records: &RecordTable,
    changes: &Vec<StateChange>,
    parent: InodeId,
) -> (result: bool)
    ensures
        result == is_changed_directory(
            records@,
            crate::request::change_views(changes@),
            parent,
        ),
{
    let ghost views = crate::request::change_views(changes@);
    let mut index: usize = 0;
    while index < changes.len()
        invariant
            index <= changes@.len(),
            views == crate::request::change_views(changes@),
            forall|i: int|
                0 <= i < index ==> changed_directory(records@, #[trigger] views[i]) != Some(parent),
        decreases changes@.len() - index,
    {
        assert(views[index as int] == changes@[index as int]@);
        match parent_of_change(records, &changes[index]) {
            Some(candidate) => {
                if candidate == parent {
                    assert(changed_directory(records@, views[index as int]) == Some(parent));
                    return true;
                }
            },
            None => {},
        }
        index = index + 1;
    }
    false
}

fn generation_follows(old: Option<DirectoryGeneration>, new: Option<DirectoryGeneration>) -> (result:
    bool)
    ensures
        result == follows(old, new),
{
    match (old, new) {
        (Some(old), Some(new)) => match old.checked_next() {
            Ok(next) => next == new,
            Err(_) => false,
        },
        _ => false,
    }
}

fn change_steps_generation(
    filesystem_id: FilesystemId,
    records: &RecordTable,
    change: &StateChange,
    parent: InodeId,
) -> (result: bool)
    ensures
        result == steps_generation(filesystem_id, records@, change@, parent),
{
    match change {
        StateChange::BumpDirectoryGeneration(inode_id) => *inode_id == parent,
        StateChange::Replace { key, record: StateRecord::Inode(replacement) } => {
            if !key.same(&RecordKey::Inode(filesystem_id, parent)) {
                return false;
            }
            match records.get(key) {
                Some(StateRecord::Inode(current)) => generation_follows(
                    current.directory_generation(),
                    replacement.directory_generation(),
                ),
                _ => false,
            }
        },
        _ => false,
    }
}

fn directory_steps(
    filesystem_id: FilesystemId,
    records: &RecordTable,
    changes: &Vec<StateChange>,
    parent: InodeId,
) -> (result: bool)
    ensures
        result == is_stepped(
            filesystem_id,
            records@,
            crate::request::change_views(changes@),
            parent,
        ),
{
    let ghost views = crate::request::change_views(changes@);
    let mut index: usize = 0;
    while index < changes.len()
        invariant
            index <= changes@.len(),
            views == crate::request::change_views(changes@),
            forall|i: int|
                0 <= i < index ==> !steps_generation(
                    filesystem_id,
                    records@,
                    #[trigger] views[i],
                    parent,
                ),
        decreases changes@.len() - index,
    {
        assert(views[index as int] == changes@[index as int]@);
        if change_steps_generation(filesystem_id, records, &changes[index], parent) {
            assert(steps_generation(filesystem_id, records@, views[index as int], parent));
            return true;
        }
        index = index + 1;
    }
    false
}

fn find_removed<'a>(
    records: &'a RecordTable,
    changes: &Vec<StateChange>,
    child: InodeId,
    parent: InodeId,
) -> (result: Option<&'a DirectoryEntryRecord>)
    ensures
        match result {
            Some(entry) => first_removed(
                records@,
                crate::request::change_views(changes@),
                child,
                parent,
            ) == Some(entry@),
            None => first_removed(
                records@,
                crate::request::change_views(changes@),
                child,
                parent,
            ) is None,
        },
{
    let ghost views = crate::request::change_views(changes@);
    let mut index: usize = 0;
    assert(views.take(0) =~= Seq::empty());
    while index < changes.len()
        invariant
            index <= changes@.len(),
            views == crate::request::change_views(changes@),
            first_removed(records@, views.take(index as int), child, parent) is None,
        decreases changes@.len() - index,
    {
        proof {
            assert(views.take(index + 1).drop_last() =~= views.take(index as int));
            assert(views.take(index + 1).last() == changes@[index as int]@);
            lemma_first_removed(records@, views, child, parent, index + 1);
        }
        match removed(records, &changes[index]) {
            Some(entry) => {
                if entry.child_inode_id == child && entry.parent_inode_id == parent {
                    return Some(entry);
                }
            },
            None => {},
        }
        index = index + 1;
    }
    assert(views.take(index as int) =~= views);
    None
}

proof fn lemma_first_removed(
    records: Records,
    changes: Seq<Change>,
    child: InodeId,
    parent: InodeId,
    count: int,
)
    requires
        0 <= count <= changes.len(),
    ensures
        first_removed(records, changes.take(count), child, parent) is Some ==> first_removed(
            records,
            changes,
            child,
            parent,
        ) == first_removed(records, changes.take(count), child, parent),
    decreases changes.len() - count,
{
    if count < changes.len() {
        lemma_first_removed(records, changes, child, parent, count + 1);
        assert(changes.take(count + 1).drop_last() =~= changes.take(count));
    } else {
        assert(changes.take(count) =~= changes);
    }
}

proof fn lemma_first_inserted(changes: Seq<Change>, child: InodeId, parent: InodeId, count: int)
    requires
        0 <= count <= changes.len(),
    ensures
        first_inserted(changes.take(count), child, parent) is Some ==> first_inserted(
            changes,
            child,
            parent,
        ) == first_inserted(changes.take(count), child, parent),
    decreases changes.len() - count,
{
    if count < changes.len() {
        lemma_first_inserted(changes, child, parent, count + 1);
        assert(changes.take(count + 1).drop_last() =~= changes.take(count));
    } else {
        assert(changes.take(count) =~= changes);
    }
}

fn find_inserted(changes: &Vec<StateChange>, child: InodeId, parent: InodeId) -> (result: Option<
    DirectoryCookie,
>)
    ensures
        match first_inserted(crate::request::change_views(changes@), child, parent) {
            Some(entry) => result == Some(entry.cookie),
            None => result is None,
        },
{
    let ghost views = crate::request::change_views(changes@);
    let mut index: usize = 0;
    assert(views.take(0) =~= Seq::empty());
    while index < changes.len()
        invariant
            index <= changes@.len(),
            views == crate::request::change_views(changes@),
            first_inserted(views.take(index as int), child, parent) is None,
        decreases changes@.len() - index,
    {
        proof {
            assert(views.take(index + 1).drop_last() =~= views.take(index as int));
            assert(views.take(index + 1).last() == changes@[index as int]@);
            lemma_first_inserted(views, child, parent, index + 1);
        }
        match &changes[index] {
            StateChange::Insert { record: StateRecord::DirectoryEntry(entry), .. } => {
                if entry.child_inode_id == child && entry.parent_inode_id == parent {
                    return Some(entry.cookie);
                }
            },
            _ => {},
        }
        index = index + 1;
    }
    assert(views.take(index as int) =~= views);
    None
}

/// Whether a directory keeps its parent, or moves its one entry with it.
pub fn directory_parent_transition_valid(
    records: &RecordTable,
    changes: &Vec<StateChange>,
    current: &InodeRecord,
    replacement: &InodeRecord,
) -> (result: bool)
    ensures
        result == parent_step_valid(
            records@,
            crate::request::change_views(changes@),
            current@,
            replacement@,
        ),
{
    match (current.directory_parent(), replacement.directory_parent()) {
        (Some(old), Some(new)) => {
            if old == new {
                return true;
            }
            match (
                find_removed(records, changes, current.inode_id, old),
                find_inserted(changes, current.inode_id, new),
            ) {
                (Some(removed), Some(cookie)) => removed.cookie == cookie,
                _ => false,
            }
        },
        (None, None) => true,
        _ => false,
    }
}

fn generation_valid(
    records: &RecordTable,
    changes: &Vec<StateChange>,
    current: &InodeRecord,
    replacement: &InodeRecord,
) -> (result: bool)
    ensures
        result == generation_step_valid(
            records@,
            crate::request::change_views(changes@),
            current@,
            replacement@,
        ),
{
    let old = current.directory_generation();
    let new = replacement.directory_generation();
    match (old, new) {
        (Some(a), Some(b)) => if changes_directory(records, changes, current.inode_id) {
            generation_follows(old, new)
        } else {
            a == b
        },
        (None, None) => true,
        _ => false,
    }
}

fn inode_replacement_valid(
    records: &RecordTable,
    changes: &Vec<StateChange>,
    current: &InodeRecord,
    replacement: &InodeRecord,
) -> (result: bool)
    ensures
        result == replacement_valid(
            records@,
            crate::request::change_views(changes@),
            StateRecord::Inode(current@),
            StateRecord::Inode(replacement@),
        ),
{
    let generation = match current.inode_generation.checked_next() {
        Ok(next) => next == replacement.inode_generation,
        Err(_) => false,
    };
    current.data.kind() == replacement.data.kind() && generation && current.same_content(
        replacement,
    ) && current.content_file_id() == replacement.content_file_id() && generation_valid(
        records,
        changes,
        current,
        replacement,
    ) && directory_parent_transition_valid(records, changes, current, replacement)
}

fn is_replacement_valid(
    records: &RecordTable,
    changes: &Vec<StateChange>,
    current: &StateRecord,
    replacement: &StateRecord,
) -> (result: bool)
    ensures
        result == replacement_valid(
            records@,
            crate::request::change_views(changes@),
            current@,
            replacement@,
        ),
{
    match (current, replacement) {
        (StateRecord::Filesystem(old), StateRecord::Filesystem(new)) => old.root_inode_id
            == new.root_inode_id && old.next_qid_path == new.next_qid_path
            && old.next_directory_cookie == new.next_directory_cookie && old.policy_generation
            == new.policy_generation,
        (StateRecord::Inode(old), StateRecord::Inode(new)) => inode_replacement_valid(
            records,
            changes,
            old,
            new,
        ),
        (StateRecord::DirectoryEntry(old), StateRecord::DirectoryEntry(new)) => old.cookie
            == new.cookie && old.parent_inode_id == new.parent_inode_id,
        (StateRecord::Lock(old), StateRecord::Lock(new)) => match old.generation.checked_next() {
            Ok(next) => next == new.generation,
            Err(_) => false,
        },
        (StateRecord::Orphan(old), StateRecord::Orphan(new)) => old.orphaned_revision
            == new.orphaned_revision,
        _ => true,
    }
}

/// Checks that changed directories step their generations, and that every
/// replacement moves its record only forwards.
pub fn validate_monotonic_transition(request: &CommitRequest, records: &RecordTable) -> (result:
    Result<(), MalformedCommit>)
    ensures
        reports(result, monotonic_failure(request.filesystem_id, records@, request.change_seq())),
{
    let filesystem_id = request.filesystem_id;
    if records.get(&RecordKey::Filesystem(filesystem_id)).is_none() {
        return Ok(());
    }
    let ghost views = request.change_seq();
    let mut index: usize = 0;
    while index < request.changes.len()
        invariant
            index <= views.len(),
            filesystem_id == request.filesystem_id,
            table::present(records@, RecordKey::Filesystem(filesystem_id)) is Some,
            views == request.change_seq(),
            views.len() == request.changes@.len(),
            forall|i: int|
                #![trigger views[i]]
                0 <= i < index ==> (changed_directory(records@, views[i]) is Some ==> is_stepped(
                    filesystem_id,
                    records@,
                    views,
                    changed_directory(records@, views[i])->0,
                )),
        decreases views.len() - index,
    {
        assert(views[index as int] == request.changes@[index as int]@);
        match parent_of_change(records, &request.changes[index]) {
            Some(parent) => {
                if !directory_steps(filesystem_id, records, &request.changes, parent) {
                    assert(is_changed_directory(records@, views, parent));
                    assert(!generations_step(filesystem_id, records@, views));
                    return Err(MalformedCommit::NamespaceGeneration);
                }
            },
            None => {},
        }
        index = index + 1;
    }
    assert(generations_step(filesystem_id, records@, views));
    let mut position: usize = 0;
    while position < request.changes.len()
        invariant
            position <= views.len(),
            filesystem_id == request.filesystem_id,
            table::present(records@, RecordKey::Filesystem(filesystem_id)) is Some,
            generations_step(filesystem_id, records@, views),
            views == request.change_seq(),
            views.len() == request.changes@.len(),
            forall|i: int|
                0 <= i < position ==> !moves_backwards(records@, views, #[trigger] views[i]),
        decreases views.len() - position,
    {
        assert(views[position as int] == request.changes@[position as int]@);
        match &request.changes[position] {
            StateChange::Replace { key, record } => match records.get(key) {
                Some(current) => {
                    if !is_replacement_valid(records, &request.changes, current, record) {
                        assert(moves_backwards(records@, views, views[position as int]));
                        return Err(MalformedCommit::NonMonotonicTransition);
                    }
                },
                None => {},
            },
            _ => {},
        }
        position = position + 1;
    }
    Ok(())
}

fn change_writes_xattr(change: &StateChange, staging: &XattrStagingRecord) -> (result: bool)
    ensures
        result == writes_xattr(change@, staging@),
{
    match change {
        StateChange::Insert { record: StateRecord::Xattr(xattr), .. } => xattr.inode_id
            == staging.inode_id && bytes_eq(&xattr.name.bytes, &staging.name.bytes),
        StateChange::Replace { record: StateRecord::Xattr(xattr), .. } => xattr.inode_id
            == staging.inode_id && bytes_eq(&xattr.name.bytes, &staging.name.bytes),
        _ => false,
    }
}

fn any_writes_xattr(changes: &Vec<StateChange>, staging: &XattrStagingRecord) -> (result: bool)
    ensures
        result == exists|i: int|
            0 <= i < changes@.len() && writes_xattr(
                #[trigger] crate::request::change_views(changes@)[i],
                staging@,
            ),
{
    let ghost views = crate::request::change_views(changes@);
    let mut index: usize = 0;
    while index < changes.len()
        invariant
            index <= changes@.len(),
            views == crate::request::change_views(changes@),
            forall|i: int| 0 <= i < index ==> !writes_xattr(#[trigger] views[i], staging@),
        decreases changes@.len() - index,
    {
        assert(views[index as int] == changes@[index as int]@);
        if change_writes_xattr(&changes[index], staging) {
            return true;
        }
        index = index + 1;
    }
    false
}

proof fn lemma_staging_error(
    filesystem_id: FilesystemId,
    records: Records,
    changes: Seq<Change>,
    count: int,
    total: int,
)
    requires
        0 <= count <= total,
    ensures
        staging_scan(filesystem_id, records, changes, count) is Err ==> staging_scan(
            filesystem_id,
            records,
            changes,
            total,
        ) == staging_scan(filesystem_id, records, changes, count),
    decreases total - count,
{
    if count < total {
        lemma_staging_error(filesystem_id, records, changes, count + 1, total);
    }
}

/// Checks the publication of staged attributes and the size of the request.
pub fn validate_xattr_transition(
    request: &CommitRequest,
    records: &RecordTable,
    limits: StateLimits,
) -> (result: Result<(), MalformedCommit>)
    ensures
        reports(result, xattr_failure(*request, records@, limits)),
{
    let filesystem_id = request.filesystem_id;
    let ghost views = request.change_seq();
    let mut staged: usize = 0;
    let mut index: usize = 0;
    while index < request.changes.len()
        invariant
            index <= views.len(),
            filesystem_id == request.filesystem_id,
            views == request.change_seq(),
            views.len() == request.changes@.len(),
            staging_scan(filesystem_id, records@, views, index as int) == Ok::<nat, Malformed>(
                staged as nat,
            ),
        decreases views.len() - index,
    {
        let change = &request.changes[index];
        proof {
            assert(views[index as int] == change@);
            lemma_staging_error(filesystem_id, records@, views, index + 1, views.len() as int);
        }
        match change {
            StateChange::PublishXattrStaging(publication) => {
                let key = RecordKey::XattrStaging(filesystem_id, publication.staging_id);
                match records.get(&key) {
                    Some(StateRecord::XattrStaging(staging)) => {
                        if staging.inode_id != publication.inode_id || !bytes_eq(
                            &staging.name.bytes,
                            &publication.name.bytes,
                        ) || !staging.is_complete() {
                            return Err(MalformedCommit::InvalidXattrStaging);
                        }
                        staged = match staged.checked_add(staging.bytes.bytes.len()) {
                            Some(staged) => staged,
                            None => {
                                return Err(MalformedCommit::Arithmetic);
                            },
                        };
                    },
                    _ => {
                        return Err(MalformedCommit::InvalidXattrStaging);
                    },
                }
            },
            StateChange::Delete(key) => match key {
                RecordKey::XattrStaging(_, _) => match records.get(key) {
                    Some(StateRecord::XattrStaging(staging)) => {
                        if any_writes_xattr(&request.changes, staging) {
                            return Err(MalformedCommit::XattrPublicationRequired);
                        }
                    },
                    _ => {},
                },
                _ => {},
            },
            _ => {},
        }
        index = index + 1;
    }
    let estimated: usize = match estimate_transaction_bytes(request) {
        Some(bytes) => match bytes.checked_add(staged) {
            Some(total) => total,
            None => {
                return Err(MalformedCommit::Arithmetic);
            },
        },
        None => {
            return Err(MalformedCommit::Arithmetic);
        },
    };
    if estimated > limits.values.max_transaction_bytes {
        return Err(
            MalformedCommit::Limit(
                StateLimitError {
                    kind: StateLimitKind::TransactionBytes,
                    actual: estimated as u64,
                    maximum: limits.values.max_transaction_bytes as u64,
                },
            ),
        );
    }
    Ok(())
}

/// Checks that a request moves the records it read only as it may.
pub fn validate_transitions(
    request: &CommitRequest,
    records: &RecordTable,
    limits: StateLimits,
) -> (result: Result<(), MalformedCommit>)
    ensures
        reports(result, transition_failure(*request, records@, limits)),
{
    validate_directory_transition(request, records)?;
    validate_qid_path_transition(request, records)?;
    validate_monotonic_transition(request, records)?;
    validate_xattr_transition(request, records, limits)
}

/// How many inodes the changes insert.
pub open spec fn inserted_inodes(changes: Seq<Change>) -> nat
    decreases changes.len(),
{
    if changes.len() == 0 {
        0
    } else {
        inserted_inodes(changes.drop_last()) + (match changes.last() {
            StateChange::Insert { record: StateRecord::Inode(_), .. } => 1nat,
            _ => 0,
        })
    }
}

/// How many path numbers the changes declare.
pub open spec fn declared_paths(changes: Seq<Change>) -> nat
    decreases changes.len(),
{
    if changes.len() == 0 {
        0
    } else {
        declared_paths(changes.drop_last()) + (match changes.last() {
            StateChange::AdvanceQidPath { count } => count as nat,
            _ => 0,
        })
    }
}

proof fn lemma_qid_counts(records: Records, changes: Seq<Change>, first: u64)
    ensures
        match qid_scan(records, changes, first) {
            Ok(state) => state.taken == inserted_inodes(changes) && state.next == first
                + inserted_inodes(changes) && state.declared == declared_paths(changes),
            Err(_) => true,
        },
    decreases changes.len(),
{
    if changes.len() > 0 {
        lemma_qid_counts(records, changes.drop_last(), first);
    }
}

/// Inserted inodes take consecutive path numbers, from the next free one on,
/// and the request declares exactly as many.
pub proof fn law_path_numbers_are_consecutive(
    filesystem_id: FilesystemId,
    records: Records,
    changes: Seq<Change>,
    index: int,
)
    requires
        header(records, filesystem_id) is Some,
        qid_failure(filesystem_id, records, changes) is None,
        0 <= index < changes.len(),
    ensures
        declared_paths(changes) == inserted_inodes(changes),
        match changes[index] {
            StateChange::Insert { record: StateRecord::Inode(inode), .. } => inode.qid_path.value
                == header(records, filesystem_id)->0.next_qid_path.value + inserted_inodes(
                changes.take(index),
            ),
            _ => true,
        },
{
    let first = header(records, filesystem_id)->0.next_qid_path.value;
    lemma_qid_counts(records, changes, first);
    lemma_qid_counts(records, changes.take(index), first);
    lemma_qid_error(records, changes, first, index);
    lemma_qid_error(records, changes, first, index + 1);
    assert(changes.take(index + 1).drop_last() =~= changes.take(index));
}

/// How many of the first `count` changes insert entries with fresh cookies.
pub open spec fn fresh_entries(records: Records, changes: Seq<Change>, count: int) -> nat
    decreases count,
{
    if count <= 0 {
        0
    } else {
        fresh_entries(records, changes, count - 1) + (match inserted_entry(changes[count - 1]) {
            Some(entry) => if transfers(records, changes, entry) {
                0nat
            } else {
                1
            },
            None => 0,
        })
    }
}

proof fn lemma_cookie_counts(records: Records, changes: Seq<Change>, first: u64, count: int)
    ensures
        match cookie_scan(records, changes, first, count) {
            Ok(state) => state.taken == fresh_entries(records, changes, count) && state.next == first
                + fresh_entries(records, changes, count),
            Err(_) => true,
        },
    decreases count,
{
    if count > 0 {
        lemma_cookie_counts(records, changes, first, count - 1);
    }
}

/// An inserted entry keeps the cookie of the deleted entry it continues, or
/// takes the next free cookie, in the order of the changes.
pub proof fn law_cookies_are_kept_or_consecutive(
    filesystem_id: FilesystemId,
    records: Records,
    changes: Seq<Change>,
    index: int,
)
    requires
        header(records, filesystem_id) is Some,
        cookie_failure(filesystem_id, records, changes) is None,
        0 <= index < changes.len(),
    ensures
        match inserted_entry(changes[index]) {
            Some(entry) => transfers(records, changes, entry) || entry.cookie.value == header(
                records,
                filesystem_id,
            )->0.next_directory_cookie.value + fresh_entries(records, changes, index),
            None => true,
        },
{
    let first = header(records, filesystem_id)->0.next_directory_cookie.value;
    lemma_cookie_counts(records, changes, first, index);
    lemma_cookie_error(records, changes, first, index, changes.len() as int);
    lemma_cookie_error(records, changes, first, index + 1, changes.len() as int);
}

/// A replaced inode keeps its kind and content, and steps its generation.
pub proof fn law_replaced_inodes_step(
    filesystem_id: FilesystemId,
    records: Records,
    changes: Seq<Change>,
    index: int,
)
    requires
        table::present(records, RecordKey::Filesystem(filesystem_id)) is Some,
        monotonic_failure(filesystem_id, records, changes) is None,
        0 <= index < changes.len(),
    ensures
        match changes[index] {
            StateChange::Replace { key, record: StateRecord::Inode(new) } => match table::present(
                records,
                key,
            ) {
                Some(StateRecord::Inode(old)) => record::data_kind(old.data) == record::data_kind(
                    new.data,
                ) && record::inode_content(old) == record::inode_content(new)
                    && new.inode_generation.value == old.inode_generation.value + 1,
                _ => true,
            },
            _ => true,
        },
{
    assert(!moves_backwards(records, changes, changes[index]));
}

} // verus!
