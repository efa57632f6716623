//! What an accepted request may do to the stored fields of the records it read.
use vstd::prelude::*;

use crate::estimate;
use crate::ids::{FilesystemId, InodeId};
use crate::key::RecordKey;
use crate::limits::StateLimits;
use crate::page_law;
use crate::precondition_law;
use crate::record::{DirectoryEntryRecord, InodeData, InodeRecord, StateRecord};
use crate::request::{CommitRequest, MalformedCommit, StateChange};
use crate::table::Records;
use crate::transition;
use crate::transition::Change;

verus! {

/// A change deletes the stored entry that links a child into a directory.
pub open spec fn unlinks(
    records: Records,
    change: Change,
    entry: DirectoryEntryRecord<Seq<u8>>,
) -> bool {
    change matches StateChange::Delete(key) && precondition_law::stands(
        records,
        key,
        StateRecord::DirectoryEntry(entry),
    )
}

/// A change inserts an entry.
pub open spec fn links(change: Change, entry: DirectoryEntryRecord<Seq<u8>>) -> bool {
    change matches StateChange::Insert { record: StateRecord::DirectoryEntry(inserted), .. }
        && inserted == entry
}

/// A change adds, alters or removes an entry of a directory.
pub open spec fn touches_directory(records: Records, change: Change, parent: InodeId) -> bool {
    match change {
        StateChange::Insert { record: StateRecord::DirectoryEntry(entry), .. } => {
            entry.parent_inode_id == parent
        },
        StateChange::Replace { record: StateRecord::DirectoryEntry(entry), .. } => {
            entry.parent_inode_id == parent
        },
        StateChange::Delete(key) => {
            &&& records.dom().contains(key)
            &&& records[key] matches Some(StateRecord::DirectoryEntry(entry))
            &&& entry.parent_inode_id == parent
        },
        _ => false,
    }
}

/// Some change adds, alters or removes an entry of a directory.
pub open spec fn some_touches(records: Records, changes: Seq<Change>, parent: InodeId) -> bool {
    exists|i: int|
        0 <= i < changes.len() && touches_directory(records, #[trigger] changes[i], parent)
}

/// Some change deletes the entry of a child in one directory and some change
/// inserts one of the same child in another, with the same cookie.
pub open spec fn moves_entry(
    records: Records,
    changes: Seq<Change>,
    child: InodeId,
    from: InodeId,
    to: InodeId,
) -> bool {
    exists|removed: DirectoryEntryRecord<Seq<u8>>, inserted: DirectoryEntryRecord<Seq<u8>>|
        {
            &&& #[trigger] unlinked(records, changes, removed)
            &&& #[trigger] linked(changes, inserted)
            &&& removed.child_inode_id == child
            &&& removed.parent_inode_id == from
            &&& inserted.child_inode_id == child
            &&& inserted.parent_inode_id == to
            &&& removed.cookie == inserted.cookie
        }
}

/// Some change deletes a stored entry.
pub open spec fn unlinked(
    records: Records,
    changes: Seq<Change>,
    entry: DirectoryEntryRecord<Seq<u8>>,
) -> bool {
    exists|i: int| 0 <= i < changes.len() && unlinks(records, #[trigger] changes[i], entry)
}

/// Some change inserts an entry.
pub open spec fn linked(changes: Seq<Change>, entry: DirectoryEntryRecord<Seq<u8>>) -> bool {
    exists|i: int| 0 <= i < changes.len() && links(#[trigger] changes[i], entry)
}

proof fn lemma_first_removed(
    records: Records,
    changes: Seq<Change>,
    child: InodeId,
    parent: InodeId,
)
    ensures
        transition::first_removed(records, changes, child, parent) matches Some(entry) ==> unlinked(
            records,
            changes,
            entry,
        ) && entry.child_inode_id == child && entry.parent_inode_id == parent,
    decreases changes.len(),
{
    if changes.len() > 0 {
        let fewer = changes.drop_last();
        lemma_first_removed(records, fewer, child, parent);
        match transition::first_removed(records, fewer, child, parent) {
            Some(entry) => {
                let i = choose|i: int|
                    0 <= i < fewer.len() && unlinks(records, #[trigger] fewer[i], entry);
                assert(changes[i] == fewer[i]);
            },
            None => {
                let last = changes[changes.len() - 1];
                match transition::removed_entry(records, last) {
                    Some(entry) => {
                        assert(unlinks(records, last, entry));
                    },
                    None => {},
                }
            },
        }
    }
}

proof fn lemma_first_inserted(changes: Seq<Change>, child: InodeId, parent: InodeId)
    ensures
        transition::first_inserted(changes, child, parent) matches Some(entry) ==> linked(
            changes,
            entry,
        ) && entry.child_inode_id == child && entry.parent_inode_id == parent,
    decreases changes.len(),
{
    if changes.len() > 0 {
        let fewer = changes.drop_last();
        lemma_first_inserted(fewer, child, parent);
        match transition::first_inserted(fewer, child, parent) {
            Some(entry) => {
                let i = choose|i: int| 0 <= i < fewer.len() && links(#[trigger] fewer[i], entry);
                assert(changes[i] == fewer[i]);
            },
            None => {
                let last = changes[changes.len() - 1];
                match transition::inserted_entry(last) {
                    Some(entry) => {
                        assert(links(last, entry));
                    },
                    None => {},
                }
            },
        }
    }
}

/// A replaced inode moves forwards: its kind, its content file and its content
/// stay, its generation is the stored one plus one. A directory's generation is
/// the stored one plus one exactly where the request changes its entries, and
/// its parent changes only along with its one entry.
pub open spec fn inode_moves_forwards(
    records: Records,
    changes: Seq<Change>,
    old: InodeRecord<Seq<u8>, Seq<char>>,
    new: InodeRecord<Seq<u8>, Seq<char>>,
) -> bool {
    &&& page_law::kind_number(old.data) == page_law::kind_number(new.data)
    &&& new.inode_generation.value == old.inode_generation.value + 1
    &&& match (old.data, new.data) {
        (
            InodeData::RegularFile { content_file_id: old_file, content: old_content, .. },
            InodeData::RegularFile { content_file_id: new_file, content: new_content, .. },
        ) => old_file == new_file && old_content == new_content,
        (
            InodeData::Directory { generation: old_generation, parent_inode_id: old_parent },
            InodeData::Directory { generation: new_generation, parent_inode_id: new_parent },
        ) => {
            &&& if some_touches(records, changes, old.inode_id) {
                new_generation.value == old_generation.value + 1
            } else {
                new_generation == old_generation
            }
            &&& old_parent == new_parent || moves_entry(
                records,
                changes,
                old.inode_id,
                old_parent,
                new_parent,
            )
        },
        _ => true,
    }
}

proof fn lemma_touches(records: Records, changes: Seq<Change>, parent: InodeId)
    ensures
        some_touches(records, changes, parent) == transition::is_changed_directory(
            records,
            changes,
            parent,
        ),
{
    assert forall|i: int| 0 <= i < changes.len() implies touches_directory(
        records,
        #[trigger] changes[i],
        parent,
    ) == (transition::changed_directory(records, changes[i]) == Some(parent)) by {}
}

/// Every replacement of an accepted request leaves alone what only other changes
/// may move: the counters of the header, the kind and content of an inode, the
/// cookie and directory of an entry, the revision at which an inode was
/// orphaned; and it steps the generation of an inode or a lock by exactly one.
pub proof fn law_replacements_move_forwards(
    request: CommitRequest,
    records: Records,
    limits: StateLimits,
    index: int,
    stored: StateRecord<Seq<u8>, Seq<char>>,
)
    requires
        transition::transition_failure(request, records, limits) is None,
        0 <= index < request.change_seq().len(),
        records.dom().contains(RecordKey::Filesystem(request.filesystem_id)),
        records[RecordKey::Filesystem(request.filesystem_id)] is Some,
    ensures
        request.change_seq()[index] matches StateChange::Replace { key, record } ==> (
        precondition_law::stands(records, key, stored) ==> match (stored, record) {
            (StateRecord::Filesystem(old), StateRecord::Filesystem(new)) => {
                &&& old.root_inode_id == new.root_inode_id
                &&& old.next_qid_path == new.next_qid_path
                &&& old.next_directory_cookie == new.next_directory_cookie
                &&& old.policy_generation == new.policy_generation
            },
            (StateRecord::Inode(old), StateRecord::Inode(new)) => inode_moves_forwards(
                records,
                request.change_seq(),
                old,
                new,
            ),
            (StateRecord::DirectoryEntry(old), StateRecord::DirectoryEntry(new)) => {
                &&& old.cookie == new.cookie
                &&& old.parent_inode_id == new.parent_inode_id
            },
            (StateRecord::Lock(old), StateRecord::Lock(new)) => new.generation.value
                == old.generation.value + 1,
            (StateRecord::Orphan(old), StateRecord::Orphan(new)) => old.orphaned_revision
                == new.orphaned_revision,
            _ => true,
        }),
{
    let changes = request.change_seq();
    assert(transition::monotonic_failure(request.filesystem_id, records, changes) is None);
    assert(!transition::moves_backwards(records, changes, changes[index]));
    match changes[index] {
        StateChange::Replace { key, record } => {
            if precondition_law::stands(records, key, stored) {
                match (stored, record) {
                    (StateRecord::Inode(old), StateRecord::Inode(new)) => {
                        lemma_touches(records, changes, old.inode_id);
                        match (old.data, new.data) {
                            (
                                InodeData::Directory { parent_inode_id: from, .. },
                                InodeData::Directory { parent_inode_id: to, .. },
                            ) => {
                                lemma_first_removed(records, changes, old.inode_id, from);
                                lemma_first_inserted(changes, old.inode_id, to);
                            },
                            _ => {},
                        }
                    },
                    _ => {},
                }
            }
        },
        _ => {},
    }
}

/// A replacement that moves a counter or the root of the header, leaves or skips
/// the next generation of an inode or a lock, changes the kind of an inode, the
/// cookie or the directory of an entry, or the revision at which an inode was
/// orphaned, has its request refused.
pub proof fn law_backward_replacements_are_refused(
    request: CommitRequest,
    records: Records,
    limits: StateLimits,
    index: int,
    stored: StateRecord<Seq<u8>, Seq<char>>,
)
    requires
        0 <= index < request.change_seq().len(),
        records.dom().contains(RecordKey::Filesystem(request.filesystem_id)),
        records[RecordKey::Filesystem(request.filesystem_id)] is Some,
        request.change_seq()[index] matches StateChange::Replace { key, record }
            && precondition_law::stands(records, key, stored) && match (stored, record) {
            (StateRecord::Filesystem(old), StateRecord::Filesystem(new)) => old.next_qid_path
                != new.next_qid_path || old.next_directory_cookie != new.next_directory_cookie
                || old.policy_generation != new.policy_generation || old.root_inode_id
                != new.root_inode_id,
            (StateRecord::Inode(old), StateRecord::Inode(new)) => new.inode_generation.value
                != old.inode_generation.value + 1 || page_law::kind_number(old.data)
                != page_law::kind_number(new.data),
            (StateRecord::DirectoryEntry(old), StateRecord::DirectoryEntry(new)) => old.cookie
                != new.cookie || old.parent_inode_id != new.parent_inode_id,
            (StateRecord::Lock(old), StateRecord::Lock(new)) => new.generation.value
                != old.generation.value + 1,
            (StateRecord::Orphan(old), StateRecord::Orphan(new)) => old.orphaned_revision
                != new.orphaned_revision,
            _ => false,
        },
    ensures
        transition::transition_failure(request, records, limits) is Some,
{
    if transition::transition_failure(request, records, limits) is None {
        law_replacements_move_forwards(request, records, limits, index, stored);
    }
}

/// A change steps the generation of a directory by one: it bumps it, or it
/// replaces the directory with the next generation.
pub open spec fn steps_directory(
    filesystem_id: FilesystemId,
    records: Records,
    change: Change,
    parent: InodeId,
) -> bool {
    match change {
        StateChange::BumpDirectoryGeneration(inode_id) => inode_id == parent,
        StateChange::Replace { key, record: StateRecord::Inode(new) } => {
            &&& key == RecordKey::<Seq<u8>>::Inode(filesystem_id, parent)
            &&& records.dom().contains(key)
            &&& records[key] matches Some(StateRecord::Inode(old))
            &&& old.data matches InodeData::Directory { generation: before, .. }
            &&& new.data matches InodeData::Directory { generation: after, .. }
            &&& after.value == before.value + 1
        },
        _ => false,
    }
}

/// Every directory whose entries an accepted request changes has its generation
/// stepped by the same request.
pub proof fn law_changed_directories_step_their_generation(
    request: CommitRequest,
    records: Records,
    limits: StateLimits,
    parent: InodeId,
)
    requires
        transition::transition_failure(request, records, limits) is None,
        records.dom().contains(RecordKey::Filesystem(request.filesystem_id)),
        records[RecordKey::Filesystem(request.filesystem_id)] is Some,
        some_touches(records, request.change_seq(), parent),
    ensures
        exists|i: int|
            0 <= i < request.change_seq().len() && steps_directory(
                request.filesystem_id,
                records,
                #[trigger] request.change_seq()[i],
                parent,
            ),
{
    let changes = request.change_seq();
    lemma_touches(records, changes, parent);
    assert(transition::is_stepped(request.filesystem_id, records, changes, parent));
    let i = choose|i: int|
        0 <= i < changes.len() && transition::steps_generation(
            request.filesystem_id,
            records,
            #[trigger] changes[i],
            parent,
        );
    assert(steps_directory(request.filesystem_id, records, changes[i], parent));
}

/// Numbers of inodes that the first changes insert.
pub open spec fn inserted_paths(changes: Seq<Change>, count: int) -> int
    decreases count,
{
    if count <= 0 {
        0
    } else {
        inserted_paths(changes, count - 1) + match changes[count - 1] {
            StateChange::Insert { record: StateRecord::Inode(_), .. } => 1int,
            _ => 0int,
        }
    }
}

/// Path numbers that the first changes declare.
pub open spec fn declared_paths(changes: Seq<Change>, count: int) -> int
    decreases count,
{
    if count <= 0 {
        0
    } else {
        declared_paths(changes, count - 1) + match changes[count - 1] {
            StateChange::AdvanceQidPath { count } => count as int,
            _ => 0int,
        }
    }
}

/// One change keeps the order of path numbers: an inserted inode takes the next
/// one, and a replaced one keeps its own.
pub open spec fn keeps_paths(records: Records, changes: Seq<Change>, first: int, index: int) -> bool {
    match changes[index] {
        StateChange::Insert { record: StateRecord::Inode(inode), .. } => inode.qid_path.value
            == first + inserted_paths(changes, index) && inode.qid_path.value < u64::MAX,
        StateChange::Replace { key, record: StateRecord::Inode(new) } => !(records.dom().contains(
            key,
        )) || (records[key] matches Some(StateRecord::Inode(old)) ==> old.qid_path
            == new.qid_path),
        _ => true,
    }
}

proof fn lemma_paths(records: Records, changes: Seq<Change>, first: u64, count: int)
    requires
        0 <= count <= changes.len(),
    ensures
        ({
            let scan = transition::qid_scan(records, changes.take(count), first);
            let kept = forall|i: int|
                0 <= i < count ==> #[trigger] keeps_paths(records, changes, first as int, i);
            let declared = declared_paths(changes, count);
            &&& inserted_paths(changes, count) >= 0
            &&& declared >= 0
            &&& scan is Ok <==> kept && declared <= u64::MAX
            &&& scan matches Ok(state) ==> state.next == first + inserted_paths(changes, count)
                && state.taken == inserted_paths(changes, count) && state.declared == declared
        }),
    decreases count,
{
    if count > 0 {
        lemma_paths(records, changes, first, count - 1);
        let taken = changes.take(count);
        assert(taken.drop_last() =~= changes.take(count - 1));
        assert(taken.last() == changes[count - 1]);
        let before = transition::qid_scan(records, changes.take(count - 1), first);
        let kept = forall|i: int|
            0 <= i < count ==> #[trigger] keeps_paths(records, changes, first as int, i);
        if kept {
            assert forall|i: int| 0 <= i < count - 1 implies #[trigger] keeps_paths(
                records,
                changes,
                first as int,
                i,
            ) by {}
            assert(keeps_paths(records, changes, first as int, count - 1));
        }
        if transition::qid_scan(records, taken, first) is Ok {
            assert(keeps_paths(records, changes, first as int, count - 1));
            assert forall|i: int| 0 <= i < count implies #[trigger] keeps_paths(
                records,
                changes,
                first as int,
                i,
            ) by {
                if i < count - 1 {
                    assert(keeps_paths(records, changes, first as int, i));
                }
            }
        }
    } else {
        assert(changes.take(0) =~= Seq::<Change>::empty());
    }
}

/// Path numbers are accepted exactly where every inserted inode takes the next
/// free one, every replaced one keeps its own, and the request declares exactly
/// as many as it inserts.
pub proof fn law_path_numbers_are_taken_in_order(
    filesystem_id: FilesystemId,
    records: Records,
    changes: Seq<Change>,
    next: u64,
)
    requires
        records.dom().contains(RecordKey::Filesystem(filesystem_id)),
        records[RecordKey::Filesystem(filesystem_id)] matches Some(StateRecord::Filesystem(header))
            && header.next_qid_path.value == next,
    ensures
        transition::qid_failure(filesystem_id, records, changes) is None <==> {
            &&& forall|i: int|
                0 <= i < changes.len() ==> #[trigger] keeps_paths(records, changes, next as int, i)
            &&& declared_paths(changes, changes.len() as int) == inserted_paths(
                changes,
                changes.len() as int,
            )
        },
{
    let count = changes.len() as int;
    lemma_paths(records, changes, next, count);
    assert(changes.take(count) =~= changes);
    lemma_few_paths(records, changes, next as int, count);
}

proof fn lemma_few_paths(records: Records, changes: Seq<Change>, first: int, count: int)
    requires
        0 <= count <= changes.len(),
        0 <= first <= u64::MAX,
    ensures
        (forall|i: int| 0 <= i < count ==> #[trigger] keeps_paths(records, changes, first, i))
            ==> inserted_paths(changes, count) <= u64::MAX,
    decreases count,
{
    if count > 0 {
        lemma_few_paths(records, changes, first, count - 1);
        if forall|i: int| 0 <= i < count ==> #[trigger] keeps_paths(records, changes, first, i) {
            assert(keeps_paths(records, changes, first, count - 1));
        }
    }
}

/// An inserted entry continues a stored one that the request deletes: it keeps
/// its cookie and its child.
pub open spec fn continues(
    records: Records,
    changes: Seq<Change>,
    entry: DirectoryEntryRecord<Seq<u8>>,
) -> bool {
    exists|removed: DirectoryEntryRecord<Seq<u8>>| #[trigger]
        unlinked(records, changes, removed) && removed.cookie == entry.cookie
            && removed.child_inode_id == entry.child_inode_id
}

/// Entries with a fresh cookie that the first changes insert.
pub open spec fn fresh_cookies(records: Records, changes: Seq<Change>, count: int) -> int
    decreases count,
{
    if count <= 0 {
        0
    } else {
        fresh_cookies(records, changes, count - 1) + match changes[count - 1] {
            StateChange::Insert { record: StateRecord::DirectoryEntry(entry), .. } => {
                if continues(records, changes, entry) {
                    0int
                } else {
                    1int
                }
            },
            _ => 0int,
        }
    }
}

/// Cookies that the first changes declare.
pub open spec fn declared_cookies(changes: Seq<Change>, count: int) -> int
    decreases count,
{
    if count <= 0 {
        0
    } else {
        declared_cookies(changes, count - 1) + match changes[count - 1] {
            StateChange::AdvanceDirectoryCookie { count } => count as int,
            _ => 0int,
        }
    }
}

/// One change keeps the order of cookies: an inserted entry that continues no
/// deleted one takes the next cookie, and a replaced one keeps its own.
pub open spec fn keeps_cookies(
    records: Records,
    changes: Seq<Change>,
    first: int,
    index: int,
) -> bool {
    match changes[index] {
        StateChange::Insert { record: StateRecord::DirectoryEntry(entry), .. } => {
            continues(records, changes, entry) || (entry.cookie.value == first + fresh_cookies(
                records,
                changes,
                index,
            ) && entry.cookie.value < u64::MAX)
        },
        StateChange::Replace { key, record: StateRecord::DirectoryEntry(new) } => !(
        records.dom().contains(key)) || (records[key] matches Some(
            StateRecord::DirectoryEntry(old),
        ) ==> old.cookie == new.cookie),
        _ => true,
    }
}

proof fn lemma_continues(
    records: Records,
    changes: Seq<Change>,
    entry: DirectoryEntryRecord<Seq<u8>>,
)
    ensures
        continues(records, changes, entry) == transition::transfers(records, changes, entry),
{
    if continues(records, changes, entry) {
        let removed = choose|removed: DirectoryEntryRecord<Seq<u8>>| #[trigger]
            unlinked(records, changes, removed) && removed.cookie == entry.cookie
                && removed.child_inode_id == entry.child_inode_id;
        let i = choose|i: int|
            0 <= i < changes.len() && unlinks(records, #[trigger] changes[i], removed);
        assert(transition::continued_by(transition::removed_entry(records, changes[i]), entry));
    }
    if transition::transfers(records, changes, entry) {
        let i = choose|i: int|
            0 <= i < changes.len() && transition::continued_by(
                transition::removed_entry(records, #[trigger] changes[i]),
                entry,
            );
        let removed = transition::removed_entry(records, changes[i])->0;
        assert(unlinks(records, changes[i], removed));
        assert(unlinked(records, changes, removed));
    }
}

proof fn lemma_cookies(records: Records, changes: Seq<Change>, first: u64, count: int)
    requires
        0 <= count <= changes.len(),
    ensures
        ({
            let scan = transition::cookie_scan(records, changes, first, count);
            let kept = forall|i: int|
                0 <= i < count ==> #[trigger] keeps_cookies(records, changes, first as int, i);
            let declared = declared_cookies(changes, count);
            &&& fresh_cookies(records, changes, count) >= 0
            &&& declared >= 0
            &&& scan is Ok <==> kept && declared <= u64::MAX
            &&& scan matches Ok(state) ==> state.next == first + fresh_cookies(
                records,
                changes,
                count,
            ) && state.taken == fresh_cookies(records, changes, count) && state.declared == declared
        }),
    decreases count,
{
    if count > 0 {
        lemma_cookies(records, changes, first, count - 1);
        match changes[count - 1] {
            StateChange::Insert { record: StateRecord::DirectoryEntry(entry), .. } => {
                lemma_continues(records, changes, entry);
            },
            _ => {},
        }
        let kept = forall|i: int|
            0 <= i < count ==> #[trigger] keeps_cookies(records, changes, first as int, i);
        if kept {
            assert forall|i: int| 0 <= i < count - 1 implies #[trigger] keeps_cookies(
                records,
                changes,
                first as int,
                i,
            ) by {}
            assert(keeps_cookies(records, changes, first as int, count - 1));
        }
        if transition::cookie_scan(records, changes, first, count) is Ok {
            assert(keeps_cookies(records, changes, first as int, count - 1));
            assert forall|i: int| 0 <= i < count implies #[trigger] keeps_cookies(
                records,
                changes,
                first as int,
                i,
            ) by {
                if i < count - 1 {
                    assert(keeps_cookies(records, changes, first as int, i));
                }
            }
        }
    }
}

proof fn lemma_few_cookies(records: Records, changes: Seq<Change>, first: int, count: int)
    requires
        0 <= count <= changes.len(),
        0 <= first <= u64::MAX,
    ensures
        (forall|i: int| 0 <= i < count ==> #[trigger] keeps_cookies(records, changes, first, i))
            ==> fresh_cookies(records, changes, count) <= u64::MAX,
    decreases count,
{
    if count > 0 {
        lemma_few_cookies(records, changes, first, count - 1);
        if forall|i: int| 0 <= i < count ==> #[trigger] keeps_cookies(records, changes, first, i) {
            assert(keeps_cookies(records, changes, first, count - 1));
        }
    }
}

/// Directory cookies are accepted exactly where every inserted entry continues a
/// deleted one or takes the next free cookie, every replaced one keeps its own,
/// and the request declares exactly as many as it takes.
pub proof fn law_cookies_are_taken_in_order(
    filesystem_id: FilesystemId,
    records: Records,
    changes: Seq<Change>,
    next: u64,
)
    requires
        records.dom().contains(RecordKey::Filesystem(filesystem_id)),
        records[RecordKey::Filesystem(filesystem_id)] matches Some(StateRecord::Filesystem(header))
            && header.next_directory_cookie.value == next,
    ensures
        transition::cookie_failure(filesystem_id, records, changes) is None <==> {
            &&& forall|i: int|
                0 <= i < changes.len() ==> #[trigger] keeps_cookies(
                    records,
                    changes,
                    next as int,
                    i,
                )
            &&& declared_cookies(changes, changes.len() as int) == fresh_cookies(
                records,
                changes,
                changes.len() as int,
            )
        },
{
    let count = changes.len() as int;
    lemma_cookies(records, changes, next, count);
    lemma_few_cookies(records, changes, next as int, count);
}

/// One change publishes staged attributes properly: what is published is staged
/// for the same inode and name and complete, and no staged attribute is deleted
/// while the request writes the attribute itself.
pub open spec fn keeps_staging(
    filesystem_id: FilesystemId,
    records: Records,
    changes: Seq<Change>,
    change: Change,
) -> bool {
    match change {
        StateChange::PublishXattrStaging(publication) => {
            let key = RecordKey::XattrStaging(filesystem_id, publication.staging_id);
            &&& records.dom().contains(key)
            &&& records[key] matches Some(StateRecord::XattrStaging(staged))
            &&& staged.inode_id == publication.inode_id
            &&& staged.name == publication.name
            &&& staged.expected_size == staged.bytes.bytes.len()
        },
        StateChange::Delete(RecordKey::XattrStaging(owner, staging_id)) => {
            let key = RecordKey::XattrStaging(owner, staging_id);
            records.dom().contains(key) ==> (records[key] matches Some(
                StateRecord::XattrStaging(staged),
            ) ==> forall|i: int|
                0 <= i < changes.len() ==> match #[trigger] changes[i] {
                    StateChange::Insert { record: StateRecord::Xattr(written), .. } => !(
                    written.inode_id == staged.inode_id && written.name == staged.name),
                    StateChange::Replace { record: StateRecord::Xattr(written), .. } => !(
                    written.inode_id == staged.inode_id && written.name == staged.name),
                    _ => true,
                })
        },
        _ => true,
    }
}

/// Staged bytes that the first changes publish.
pub open spec fn staged_bytes(
    filesystem_id: FilesystemId,
    records: Records,
    changes: Seq<Change>,
    count: int,
) -> int
    decreases count,
{
    if count <= 0 {
        0
    } else {
        staged_bytes(filesystem_id, records, changes, count - 1) + match changes[count - 1] {
            StateChange::PublishXattrStaging(publication) => match records[RecordKey::XattrStaging(
                filesystem_id,
                publication.staging_id,
            )] {
                Some(StateRecord::XattrStaging(staged)) => staged.bytes.bytes.len() as int,
                _ => 0int,
            },
            _ => 0int,
        }
    }
}

proof fn lemma_staging(
    filesystem_id: FilesystemId,
    records: Records,
    changes: Seq<Change>,
    count: int,
    index: int,
)
    requires
        0 <= index < count <= changes.len(),
        transition::staging_scan(filesystem_id, records, changes, count) is Ok,
    ensures
        keeps_staging(filesystem_id, records, changes, changes[index]),
        transition::staging_scan(filesystem_id, records, changes, count)->Ok_0 == staged_bytes(
            filesystem_id,
            records,
            changes,
            count,
        ),
    decreases count,
{
    if index < count - 1 {
        lemma_staging(filesystem_id, records, changes, count - 1, index);
    } else if count > 1 {
        lemma_staging(filesystem_id, records, changes, count - 1, count - 2);
    }
    reveal_with_fuel(transition::staging_scan, 2);
    reveal_with_fuel(staged_bytes, 2);
    match changes[index] {
        StateChange::Delete(RecordKey::XattrStaging(owner, staging_id)) => {
            let key = RecordKey::XattrStaging(owner, staging_id);
            if index == count - 1 && records.dom().contains(key) {
                match records[key] {
                    Some(StateRecord::XattrStaging(staged)) => {
                        assert forall|i: int| 0 <= i < changes.len() implies match
                            #[trigger] changes[i] {
                            StateChange::Insert { record: StateRecord::Xattr(written), .. } => !(
                            written.inode_id == staged.inode_id && written.name == staged.name),
                            StateChange::Replace { record: StateRecord::Xattr(written), .. } => !(
                            written.inode_id == staged.inode_id && written.name == staged.name),
                            _ => true,
                        } by {
                            assert(!transition::writes_xattr(changes[i], staged));
                        }
                    },
                    _ => {},
                }
            }
        },
        _ => {},
    }
}

/// Whatever an accepted request publishes was staged whole for the same inode
/// and name, no staged attribute is deleted beside a direct write of it, and the
/// request together with the staged bytes keeps the limit of a transaction.
pub proof fn law_published_attributes_were_staged(
    request: CommitRequest,
    records: Records,
    limits: StateLimits,
    index: int,
)
    requires
        transition::transition_failure(request, records, limits) is None,
        0 <= index < request.change_seq().len(),
    ensures
        keeps_staging(
            request.filesystem_id,
            records,
            request.change_seq(),
            request.change_seq()[index],
        ),
        estimate::request_bytes(request) + staged_bytes(
            request.filesystem_id,
            records,
            request.change_seq(),
            request.change_seq().len() as int,
        ) <= limits.values.max_transaction_bytes,
{
    let changes = request.change_seq();
    lemma_staging(request.filesystem_id, records, changes, changes.len() as int, index);
}

/// A request is accepted only where its cookies, its path numbers and its
/// replacements all are, and a broken rule of cookies is reported before one of
/// path numbers, that before one of order.
pub proof fn law_first_broken_rule_is_reported(
    request: CommitRequest,
    records: Records,
    limits: StateLimits,
)
    ensures
        ({
            let changes = request.change_seq();
            let cookies = transition::cookie_failure(request.filesystem_id, records, changes);
            let paths = transition::qid_failure(request.filesystem_id, records, changes);
            let order = transition::monotonic_failure(request.filesystem_id, records, changes);
            let failure = transition::transition_failure(request, records, limits);
            &&& failure is None ==> cookies is None && paths is None && order is None
            &&& cookies is Some ==> failure == cookies
            &&& cookies is None && paths is Some ==> failure == paths
            &&& cookies is None && paths is None && order is Some ==> failure == order
            &&& order matches Some(error) ==> error == MalformedCommit::<
                Seq<u8>,
            >::NamespaceGeneration || error == MalformedCommit::<Seq<u8>>::NonMonotonicTransition
        }),
{
}

} // verus!
